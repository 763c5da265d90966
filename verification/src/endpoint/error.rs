//! Public failures of the endpoint.

use crate::error::OperationError;
use crate::text::around_text;
use vstd::prelude::*;

verus! {

/// Failure of endpoint startup, command admission or resource cleanup.
#[derive(Clone, Debug, PartialEq, Eq)]
#[non_exhaustive]
pub enum EndpointError {
    /// The endpoint has no connection to carry the command.
    NotConnected,
    /// A routed operation ended with its precise protocol failure.
    Operation(OperationError),
    /// The bounded command budget is exhausted.
    Backpressure,
    /// The runtime ended or was dropped.
    RuntimeStopped,
    /// A close under way must finish first.
    Draining,
    /// A local failure requires an explicit stop before another start.
    Faulted,
    /// The connection that the command was meant for was replaced.
    StaleConnectionGeneration,
    /// Cleanup could not prove that all tasks were released.
    CleanupUnproven,
    /// The operating system refused a socket.
    Io {
        /// Name of the error category.
        kind: String,
        /// Description of the failure.
        message: String,
    },
    /// A monotonic counter was exhausted.
    IdentifierExhausted,
}

impl EndpointError {
    /// Text shown for the error.
    pub open spec fn spec_message(self) -> Seq<char> {
        match self {
            EndpointError::NotConnected => "HSMS endpoint has no current connection"@,
            EndpointError::Operation(error) => error.spec_message(),
            EndpointError::Backpressure => "HSMS endpoint command capacity exhausted"@,
            EndpointError::RuntimeStopped => "HSMS endpoint runtime has stopped"@,
            EndpointError::Draining => "HSMS endpoint is draining"@,
            EndpointError::Faulted => "HSMS endpoint is faulted"@,
            EndpointError::StaleConnectionGeneration => {
                "HSMS request belongs to a stale connection generation"@
            },
            EndpointError::CleanupUnproven => "HSMS cleanup could not prove resource release"@,
            EndpointError::Io { kind, message } => {
                "HSMS endpoint I/O error ("@ + kind@ + "): "@ + message@
            },
            EndpointError::IdentifierExhausted => "HSMS endpoint identity space exhausted"@,
        }
    }

    /// Returns the text shown for the error.
    pub fn message(&self) -> (r: String)
        ensures
            r@ == self.spec_message(),
    {
        match self {
            EndpointError::NotConnected => "HSMS endpoint has no current connection".to_owned(),
            EndpointError::Operation(error) => error.message(),
            EndpointError::Backpressure => "HSMS endpoint command capacity exhausted".to_owned(),
            EndpointError::RuntimeStopped => "HSMS endpoint runtime has stopped".to_owned(),
            EndpointError::Draining => "HSMS endpoint is draining".to_owned(),
            EndpointError::Faulted => "HSMS endpoint is faulted".to_owned(),
            EndpointError::StaleConnectionGeneration => {
                "HSMS request belongs to a stale connection generation".to_owned()
            },
            EndpointError::CleanupUnproven => {
                "HSMS cleanup could not prove resource release".to_owned()
            },
            EndpointError::Io { kind, message } => {
                let mut text = around_text("HSMS endpoint I/O error (", kind.as_str(), "): ");
                text.append(message.as_str());
                text
            },
            EndpointError::IdentifierExhausted => {
                "HSMS endpoint identity space exhausted".to_owned()
            },
        }
    }
}

} // verus!
