//! Read-only lifecycle state of an endpoint.

use crate::error::TimeoutKind;
use crate::model::ids::{ConnectionGeneration, LifecycleSequence};
use vstd::prelude::*;

verus! {

/// What the caller wants the long-lived endpoint to do.
#[derive(Clone, Copy, Debug, PartialEq, Eq, Structural)]
pub enum RunningIntent {
    /// The application wants the logical endpoint fully stopped.
    Stopped,
    /// The application wants the endpoint supervising a connection.
    Running,
}

/// Coarse endpoint lifecycle phase.
#[derive(Clone, Copy, Debug, PartialEq, Eq, Structural)]
pub enum EndpointPhase {
    /// No generation is open and cleanup has proven all resources released.
    StoppedClean,
    /// Startup or initial connection supervision is being established.
    Starting,
    /// The endpoint supervisor is active, with or without a current connection.
    Running,
    /// Admission is closed while one generation is being drained and cleaned.
    Draining,
    /// Cleanup could not prove safety; explicit stop/restart recovery is required.
    Faulted,
}

/// Snapshot of the single generation slot owned by the endpoint.
#[derive(Clone, Copy, Debug, PartialEq, Eq, Structural)]
pub enum GenerationSlotSnapshot {
    /// The endpoint currently owns no TCP generation.
    Vacant,
    /// The identified generation is open for admitted work.
    Open(ConnectionGeneration),
    /// The identified generation exists but its admission gate is closed.
    Draining(ConnectionGeneration),
}

/// HSMS-SS selection state inside one TCP generation.
#[derive(Clone, Copy, Debug, PartialEq, Eq, Structural)]
pub enum SessionState {
    /// TCP is established but the HSMS session is not selected.
    NotSelected,
    /// The session may exchange HSMS Data messages.
    Selected,
    /// The session has entered protocol/runtime shutdown.
    Closing,
    /// This generation can no longer process protocol work.
    Closed,
}

/// Public classification of a connection exit.
#[derive(Clone, Copy, Debug, PartialEq, Eq, Structural)]
pub enum ConnectionCloseReason {
    /// The application stopped the endpoint.
    LocalStop,
    /// The application disconnected the generation.
    LocalDisconnect,
    /// The application separated the session.
    LocalSeparate,
    /// The peer separated the session.
    SeparateReceived,
    /// The transport failed or ended.
    TransportLost,
    /// The peer violated the protocol.
    ProtocolViolation,
    /// A control frame found no Writer capacity.
    ControlBackpressure,
    /// The application did not keep up with delivery.
    ApplicationBackpressure,
    /// No System Bytes were left.
    SystemBytesExhausted,
    /// An internal invariant failed.
    RuntimeInvariant,
    /// A communications timer expired.
    CommunicationsTimeout(TimeoutKind),
}

/// Public report for the most recent connection exit and cleanup attempt.
#[derive(Clone, Copy, Debug, PartialEq, Eq, Structural)]
pub struct ConnectionExitReport {
    /// TCP generation associated with this exit and cleanup attempt.
    pub generation: ConnectionGeneration,
    /// Public close classification recorded for that generation.
    pub reason: ConnectionCloseReason,
    /// Whether cleanup proved that every generation resource was released.
    pub clean: bool,
}

impl ConnectionExitReport {
    /// Creates an exit report with the outcome of its latest cleanup attempt.
    pub fn new(
        generation: ConnectionGeneration,
        reason: ConnectionCloseReason,
        clean: bool,
    ) -> (r: Self)
        ensures
            r == (ConnectionExitReport { generation, reason, clean }),
    {
        ConnectionExitReport { generation, reason, clean }
    }

    /// Returns the connection generation associated with the report.
    #[must_use]
    pub fn generation(self) -> (r: ConnectionGeneration)
        ensures
            r == self.generation,
    {
        self.generation
    }

    /// Returns the public close classification for the generation.
    #[must_use]
    pub fn reason(self) -> (r: ConnectionCloseReason)
        ensures
            r == self.reason,
    {
        self.reason
    }

    /// Returns whether cleanup proved that all generation resources were released.
    #[must_use]
    pub fn clean(self) -> (r: bool)
        ensures
            r == self.clean,
    {
        self.clean
    }
}

/// Read-only endpoint lifecycle state published to applications.
#[derive(Clone, Copy, Debug, PartialEq, Eq, Structural)]
pub struct EndpointStateSnapshot {
    /// Latest application running intent committed by the endpoint runtime.
    pub desired: RunningIntent,
    /// Coarse lifecycle phase committed at the same sequence.
    pub phase: EndpointPhase,
    /// State of the endpoint's single replaceable generation slot.
    pub generation: GenerationSlotSnapshot,
    /// Monotonic lifecycle revision exposed as a primitive public value.
    pub sequence: u64,
    /// Selection state of the current generation, if one exists.
    pub session: Option<SessionState>,
    /// Most recent exit/cleanup report, retained even when cleanup is unproven.
    pub last_exit: Option<ConnectionExitReport>,
}

/// Initial snapshot of an endpoint that has never started.
pub open spec fn initial_snapshot() -> EndpointStateSnapshot {
    EndpointStateSnapshot {
        desired: RunningIntent::Stopped,
        phase: EndpointPhase::StoppedClean,
        generation: GenerationSlotSnapshot::Vacant,
        sequence: 0,
        session: None,
        last_exit: None,
    }
}

impl EndpointStateSnapshot {
    /// Returns the initial snapshot for a clean endpoint that has never started.
    #[must_use]
    pub fn stopped_clean() -> (r: Self)
        ensures
            r == initial_snapshot(),
    {
        EndpointStateSnapshot {
            desired: RunningIntent::Stopped,
            phase: EndpointPhase::StoppedClean,
            generation: GenerationSlotSnapshot::Vacant,
            sequence: 0,
            session: None,
            last_exit: None,
        }
    }

    /// Builds a snapshot from one atomically observed lifecycle revision.
    pub fn new(
        desired: RunningIntent,
        phase: EndpointPhase,
        generation: GenerationSlotSnapshot,
        sequence: LifecycleSequence,
        session: Option<SessionState>,
    ) -> (r: Self)
        ensures
            r == (EndpointStateSnapshot {
                desired,
                phase,
                generation,
                sequence: sequence.value,
                session,
                last_exit: None,
            }),
    {
        EndpointStateSnapshot {
            desired,
            phase,
            generation,
            sequence: sequence.get(),
            session,
            last_exit: None,
        }
    }

    /// Returns a copy of the most recent exit/cleanup report, if any.
    #[must_use]
    pub fn last_exit(self) -> (r: Option<ConnectionExitReport>)
        ensures
            r == self.last_exit,
    {
        self.last_exit
    }

    /// Returns this snapshot with the most recent exit/cleanup report.
    pub fn with_last_exit(self, value: Option<ConnectionExitReport>) -> (r: Self)
        ensures
            r == (EndpointStateSnapshot { last_exit: value, ..self }),
    {
        EndpointStateSnapshot { last_exit: value, ..self }
    }

    /// Returns the application's latest running intent.
    #[must_use]
    pub fn desired(self) -> (r: RunningIntent)
        ensures
            r == self.desired,
    {
        self.desired
    }

    /// Returns the endpoint's coarse lifecycle phase.
    #[must_use]
    pub fn phase(self) -> (r: EndpointPhase)
        ensures
            r == self.phase,
    {
        self.phase
    }

    /// Returns the current state of the replaceable generation slot.
    #[must_use]
    pub fn generation(self) -> (r: GenerationSlotSnapshot)
        ensures
            r == self.generation,
    {
        self.generation
    }

    /// Returns the monotonic lifecycle revision represented by this snapshot.
    #[must_use]
    pub fn sequence(self) -> (r: u64)
        ensures
            r == self.sequence,
    {
        self.sequence
    }

    /// Returns the current generation's session state, if a generation exists.
    #[must_use]
    pub fn session(self) -> (r: Option<SessionState>)
        ensures
            r == self.session,
    {
        self.session
    }
}

impl Default for EndpointStateSnapshot {
    /// Returns the same initial clean state as [`Self::stopped_clean`].
    fn default() -> (r: Self)
        ensures
            r == initial_snapshot(),
    {
        EndpointStateSnapshot::stopped_clean()
    }
}

} // verus!
