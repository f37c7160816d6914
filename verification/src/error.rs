//! The bridge's error taxonomy.
//!
//! Every failure is returned to the direct caller and reported on the
//! `fatal` channel with its message text passed through verbatim; none is
//! silently dropped.

use vstd::prelude::*;

verus! {

/// What went wrong, by the phase that surfaced it.
#[derive(Debug, PartialEq, Eq)]
pub enum BridgeError {
    /// A missing or invalid path or option, surfaced at initialization.
    Config(String),
    /// Malformed source, surfaced when source compilation was requested.
    Compile(String),
    /// A structurally invalid graph/state combination.
    Validation(String),
    /// Persisted progression state absent or corrupt. Recovered locally by
    /// substituting a fresh default state, so it never reaches a caller.
    State(String),
    /// An operation requested while the bridge is not ready, or a jump to
    /// a passage that does not exist.
    Runtime(String),
    /// A save or load failure.
    Io(String),
}

/// The message text carried by an error.
pub open spec fn err_message(e: BridgeError) -> Seq<char> {
    match e {
        BridgeError::Config(m) => m@,
        BridgeError::Compile(m) => m@,
        BridgeError::Validation(m) => m@,
        BridgeError::State(m) => m@,
        BridgeError::Runtime(m) => m@,
        BridgeError::Io(m) => m@,
    }
}

impl BridgeError {
    /// The human-readable message, verbatim.
    pub fn message(&self) -> (r: &str)
        ensures
            r@ == err_message(*self),
    {
        match self {
            BridgeError::Config(m) => m.as_str(),
            BridgeError::Compile(m) => m.as_str(),
            BridgeError::Validation(m) => m.as_str(),
            BridgeError::State(m) => m.as_str(),
            BridgeError::Runtime(m) => m.as_str(),
            BridgeError::Io(m) => m.as_str(),
        }
    }
}

} // verus!
