//! Event bridge between external event sources and in-process subscribers.
//!
//! The bridge owns one live connection per external source (a window-manager
//! IPC socket, a system bus), lets call sites register typed callbacks for
//! event kinds at any time, keeps exactly one background dispatcher task per
//! source, and projects raw events into domain updates broadcast to many
//! independent subscribers, with a full-state `Init` replay for each new
//! subscriber.
//!
//! This crate holds the verified decision logic: the registry and task
//! controller state machine, the dispatch ordering, the broadcast model and
//! the per-domain projections. The surrounding process runs the transports
//! and executes the actions the controller hands back.

use vstd::prelude::*;

pub mod channel;
pub mod keymode;
pub mod network_client;
pub mod network_module;
pub mod projector;
pub mod submap;
pub mod sway;
pub mod workspace;
mod strutil;

verus! {

/// The error taxonomy of the bridge.
#[derive(Clone, Copy, Debug, PartialEq, Eq, Structural)]
pub enum BridgeError {
    /// A connection to an external source could not be established; fatal to
    /// that source's bridge instance.
    Connectivity,
    /// The external source returned a value of unexpected shape; treated as a
    /// contract breach by the source, unrecoverable for that read.
    ProtocolViolation,
    /// Exclusive access to the registry and task handle could not be obtained,
    /// or a prior task failed to terminate; fatal for that source.
    RegistrationRace,
    /// No supported backend was found to register against.
    NoBackend,
}

impl BridgeError {
    /// A short description of the error, for display by outer layers.
    pub fn message(&self) -> (r: &'static str)
        ensures
            r@ == self.spec_message(),
    {
        match self {
            BridgeError::Connectivity => "failed to connect to the external source",
            BridgeError::ProtocolViolation => "the external source violated its protocol",
            BridgeError::RegistrationRace => "failed to get exclusive access to the listener registry",
            BridgeError::NoBackend => "no supported backend found",
        }
    }

    pub open spec fn spec_message(&self) -> Seq<char> {
        match self {
            BridgeError::Connectivity => "failed to connect to the external source"@,
            BridgeError::ProtocolViolation => "the external source violated its protocol"@,
            BridgeError::RegistrationRace => "failed to get exclusive access to the listener registry"@,
            BridgeError::NoBackend => "no supported backend found"@,
        }
    }
}

} // verus!
