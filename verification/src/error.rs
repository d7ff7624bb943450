//! The failure taxonomy shared by every surface of the fabric.
use vstd::prelude::*;
use vstd::string::*;

verus! {

/// Everything that can go wrong in the fabric. Each variant but `Cancelled`
/// carries the detail as text.
#[derive(Debug, Clone, PartialEq, Eq)]
pub enum FabricError {
    /// The bus refused to open, declare, put or receive.
    ZenohError(String),
    /// A JSON payload could not be encoded or decoded.
    SerdeJsonError(String),
    /// A YAML document could not be encoded or decoded.
    SerdeYamlError(String),
    /// File input or output failed in a loader hosted next to the core.
    IoError(String),
    /// `publish` was called for a topic that has no publisher.
    PublisherNotFound(String),
    /// Anything else.
    Other(String),
    /// The bus reported a failure through its API layer.
    ZenohApiError(String),
    /// A configuration push gave up after its retry budget.
    PublishError(String),
    /// A plugin rejected the configuration it was given.
    InvalidConfig(String),
    /// A node was asked for under a type name that no plugin is registered for.
    UnknownPluginType(String),
    /// The operation saw its cancellation signal.
    Cancelled,
}

impl FabricError {
    /// The fixed words that open the rendered error.
    pub open spec fn prefix(self) -> Seq<char> {
        match self {
            FabricError::ZenohError(_) => "Zenoh error: "@,
            FabricError::SerdeJsonError(_) => "Serde JSON error: "@,
            FabricError::SerdeYamlError(_) => "Serde YAML error: "@,
            FabricError::IoError(_) => "IO error: "@,
            FabricError::PublisherNotFound(_) => "Publisher not found for topic: "@,
            FabricError::Other(_) => "Other error: "@,
            FabricError::ZenohApiError(_) => "Zenoh API error: "@,
            FabricError::PublishError(_) => "Failed to publish data: "@,
            FabricError::InvalidConfig(_) => "Invalid configuration: "@,
            FabricError::UnknownPluginType(_) => "Unknown plugin type: "@,
            FabricError::Cancelled => "Operation cancelled"@,
        }
    }

    /// The detail the error carries; empty for `Cancelled`.
    pub open spec fn detail(self) -> Seq<char> {
        match self {
            FabricError::ZenohError(d) => d@,
            FabricError::SerdeJsonError(d) => d@,
            FabricError::SerdeYamlError(d) => d@,
            FabricError::IoError(d) => d@,
            FabricError::PublisherNotFound(d) => d@,
            FabricError::Other(d) => d@,
            FabricError::ZenohApiError(d) => d@,
            FabricError::PublishError(d) => d@,
            FabricError::InvalidConfig(d) => d@,
            FabricError::UnknownPluginType(d) => d@,
            FabricError::Cancelled => Seq::empty(),
        }
    }

    /// The rendered error: the prefix followed by the detail.
    pub open spec fn text(self) -> Seq<char> {
        self.prefix() + self.detail()
    }

    /// Renders the error for a person to read.
    pub fn to_string(&self) -> (rendered: String)
        ensures
            rendered@ == self.text(),
    {
        match self {
            FabricError::ZenohError(d) => String::from_str("Zenoh error: ").concat(d.as_str()),
            FabricError::SerdeJsonError(d) => String::from_str("Serde JSON error: ").concat(
                d.as_str(),
            ),
            FabricError::SerdeYamlError(d) => String::from_str("Serde YAML error: ").concat(
                d.as_str(),
            ),
            FabricError::IoError(d) => String::from_str("IO error: ").concat(d.as_str()),
            FabricError::PublisherNotFound(d) => String::from_str(
                "Publisher not found for topic: ",
            ).concat(d.as_str()),
            FabricError::Other(d) => String::from_str("Other error: ").concat(d.as_str()),
            FabricError::ZenohApiError(d) => String::from_str("Zenoh API error: ").concat(
                d.as_str(),
            ),
            FabricError::PublishError(d) => String::from_str("Failed to publish data: ").concat(
                d.as_str(),
            ),
            FabricError::InvalidConfig(d) => String::from_str("Invalid configuration: ").concat(
                d.as_str(),
            ),
            FabricError::UnknownPluginType(d) => String::from_str("Unknown plugin type: ").concat(
                d.as_str(),
            ),
            FabricError::Cancelled => {
                let rendered = String::from_str("Operation cancelled");
                assert(rendered@ + Seq::<char>::empty() =~= rendered@);
                rendered
            },
        }
    }
}

} // verus!
