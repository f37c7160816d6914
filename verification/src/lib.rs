//! A verified runtime lifecycle and execution-bridge layer for the kataru
//! dialogue engine: it owns a compiled dialogue graph together with the
//! mutable progression state, drives stepwise execution, detects source
//! changes for hot reload, and classifies every execution result into a
//! host-consumable notification.

pub mod bridge;
pub mod engine;
pub mod error;
pub mod normalizer;
pub mod notify;
pub mod watcher;

pub use bridge::{BridgeState, KataruInterface, DEBUG_INFO, DEBUG_NONE, DEBUG_VERBOSE};
pub use error::BridgeError;
pub use normalizer::get_normalized_command;
pub use notify::{dispatch, Channel, ExecutionResult, Notification};
pub use watcher::WatchSet;
