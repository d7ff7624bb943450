//! Coordination core of a device fabric.
//!
//! Worker nodes publish liveness and telemetry on a publish/subscribe bus keyed
//! by topics; orchestrators watch liveness, push configuration and fan out
//! callbacks. This crate holds the rules of that coordination as synchronous
//! state and transitions: the caller owns the bus session and the timers,
//! hands each event to the core and carries out what the core decides.
pub mod clock;
pub mod dispatch;
pub mod endpoints;
pub mod error;
pub mod json;
pub mod logging;
pub mod node;
pub mod orchestrator;
pub mod plugins;
pub mod registry;
pub mod retry;
pub mod text;
pub mod topic;

pub use crate::error::FabricError;
pub use crate::logging::init_logger;
pub use crate::node::Node;
